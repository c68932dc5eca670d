//! The shop itself: its state, the three phases of a frame, and its setup.

use vstd::prelude::*;
use crate::button::{ButtonOutcome, InteractionState, ShopButton};
use crate::labels::{
    coins_label, damage_label, initial_status_label, speed_label, status_label,
};
use crate::model::{
    apply_all, fresh_button, GameState, LabelsModel, PurchaseEvent, ShopModel, ShopSystemSet,
};
use crate::laws::lemma_upgrades_keep_coins;
use crate::stats::PlayerStats;
use crate::upgrade::UpgradeType;

verus! {

/// What a label stands for: its text, if the label is present.
pub open spec fn label_text(label: Option<String>) -> Option<Seq<char>> {
    match label {
        Some(text) => Some(text@),
        None => None,
    }
}

/// One entry of the catalog: an upgrade, the text on its button and its cost.
pub struct UpgradeDefinition {
    pub upgrade_type: UpgradeType,
    pub label: String,
    pub cost: u32,
}

/// What an `UpgradeDefinition` stands for.
pub struct DefinitionModel {
    pub upgrade_type: UpgradeType,
    pub label: Seq<char>,
    pub cost: int,
}

impl View for UpgradeDefinition {
    type V = DefinitionModel;

    open spec fn view(&self) -> DefinitionModel {
        DefinitionModel {
            upgrade_type: self.upgrade_type,
            label: self.label@,
            cost: self.cost as int,
        }
    }
}

/// The upgrades on sale, in the order of their buttons.
pub open spec fn catalog_model() -> Seq<DefinitionModel> {
    seq![
        DefinitionModel {
            upgrade_type: UpgradeType::Damage,
            label: "Damage +5 (Cost: 50)"@,
            cost: 50,
        },
        DefinitionModel {
            upgrade_type: UpgradeType::Speed,
            label: "Speed +0.2 (Cost: 30)"@,
            cost: 30,
        },
    ]
}

/// The upgrades on sale, in the order of their buttons.
pub fn shop_catalog() -> (catalog: Vec<UpgradeDefinition>)
    ensures
        catalog@.len() == 2,
        catalog@[0]@ == catalog_model()[0],
        catalog@[1]@ == catalog_model()[1],
{
    let mut catalog: Vec<UpgradeDefinition> = Vec::new();
    catalog.push(
        UpgradeDefinition {
            upgrade_type: UpgradeType::Damage,
            label: String::from_str("Damage +5 (Cost: 50)"),
            cost: 50,
        },
    );
    catalog.push(
        UpgradeDefinition {
            upgrade_type: UpgradeType::Speed,
            label: String::from_str("Speed +0.2 (Cost: 30)"),
            cost: 30,
        },
    );
    catalog
}

/// The state of the shop between and within frames.
pub struct Shop {
    stats: PlayerStats,
    buttons: Vec<ShopButton>,
    queue: Vec<PurchaseEvent>,
    coins_label: Option<String>,
    damage_label: Option<String>,
    speed_label: Option<String>,
    status_label: Option<String>,
}

impl View for Shop {
    type V = ShopModel;

    closed spec fn view(&self) -> ShopModel {
        ShopModel {
            stats: self.stats@,
            buttons: self.buttons@.map_values(|b: ShopButton| b@),
            queue: self.queue@,
            labels: LabelsModel {
                coins: label_text(self.coins_label),
                damage: label_text(self.damage_label),
                speed: label_text(self.speed_label),
                status: label_text(self.status_label),
            },
        }
    }
}

impl Shop {
    /// A shop with the given statistics and nothing else: no buttons, no
    /// labels, no purchase queued.
    pub fn new(stats: PlayerStats) -> (shop: Shop)
        ensures
            shop@ == (ShopModel {
                stats: stats@,
                buttons: Seq::empty(),
                queue: Seq::empty(),
                labels: LabelsModel { coins: None, damage: None, speed: None, status: None },
            }),
            shop@.wf(),
    {
        proof {
            stats.lemma_bounds();
        }
        let shop = Shop {
            stats,
            buttons: Vec::new(),
            queue: Vec::new(),
            coins_label: None,
            damage_label: None,
            speed_label: None,
            status_label: None,
        };
        assert(shop@.buttons =~= Seq::empty());
        shop
    }

    /// In a well-formed shop each button held is well formed.
    proof fn lemma_buttons_well_formed(self)
        ensures
            self@.wf() ==> forall|j: int|
                0 <= j < self.buttons@.len() ==> (#[trigger] self.buttons@[j])@.wf(),
    {
        if self@.wf() {
            assert forall|j: int| 0 <= j < self.buttons@.len() implies (
            #[trigger] self.buttons@[j])@.wf() by {
                assert(self@.buttons[j].wf());
            }
        }
    }

    pub fn stats(&self) -> (r: PlayerStats)
        ensures
            r@ == self@.stats,
    {
        self.stats
    }

    /// The number of buttons.
    pub fn button_count(&self) -> (n: usize)
        ensures
            n == self@.buttons.len(),
    {
        self.buttons.len()
    }

    /// The button at `index`, if there is one.
    pub fn button(&self, index: usize) -> (r: Option<ShopButton>)
        ensures
            r.is_some() == (index < self@.buttons.len()),
            r.is_some() ==> r.unwrap()@ == self@.buttons[index as int],
    {
        if index < self.buttons.len() {
            Some(self.buttons[index])
        } else {
            None
        }
    }

    /// The number of purchases paid for and not yet applied.
    pub fn pending(&self) -> (n: usize)
        ensures
            n == self@.queue.len(),
    {
        self.queue.len()
    }

    /// The queued purchase at `index`, counted from the oldest, if there is one.
    pub fn pending_at(&self, index: usize) -> (r: Option<PurchaseEvent>)
        ensures
            r.is_some() == (index < self@.queue.len()),
            r.is_some() ==> r.unwrap() == self@.queue[index as int],
    {
        if index < self.queue.len() {
            Some(self.queue[index])
        } else {
            None
        }
    }

    pub fn coins_label(&self) -> (r: &Option<String>)
        ensures
            label_text(*r) == self@.labels.coins,
    {
        &self.coins_label
    }

    pub fn damage_label(&self) -> (r: &Option<String>)
        ensures
            label_text(*r) == self@.labels.damage,
    {
        &self.damage_label
    }

    pub fn speed_label(&self) -> (r: &Option<String>)
        ensures
            label_text(*r) == self@.labels.speed,
    {
        &self.speed_label
    }

    pub fn status_label(&self) -> (r: &Option<String>)
        ensures
            label_text(*r) == self@.labels.status,
    {
        &self.status_label
    }

    /// Queues a purchase behind those already waiting.
    pub fn send(&mut self, event: PurchaseEvent)
        ensures
            final(self)@ == (ShopModel { queue: old(self)@.queue.push(event), ..old(self)@ }),
            old(self)@.wf() ==> final(self)@.wf(),
    {
        proof {
            self.stats.lemma_bounds();
        }
        self.queue.push(event);
    }

    /// Records the interaction that the input layer reports for the button
    /// at `index`, and says whether there is such a button.
    pub fn set_interaction(&mut self, index: usize, interaction: InteractionState) -> (found: bool)
        ensures
            found == (index < old(self)@.buttons.len()),
            found ==> final(self)@ == (ShopModel {
                buttons: old(self)@.buttons.update(
                    index as int,
                    old(self)@.buttons[index as int].observing(interaction),
                ),
                ..old(self)@
            }),
            !found ==> final(self)@ == old(self)@,
            old(self)@.wf() ==> final(self)@.wf(),
    {
        proof {
            self.stats.lemma_bounds();
        }
        if index < self.buttons.len() {
            let mut button = self.buttons[index];
            button.set_interaction(interaction);
            self.buttons.set(index, button);
            assert(self@.buttons =~= old(self)@.buttons.update(
                index as int,
                old(self)@.buttons[index as int].observing(interaction),
            ));
            true
        } else {
            false
        }
    }

    /// Records the interactions of one frame, one for each button in its
    /// place. A button beyond the end of `signals` keeps the interaction it
    /// had, and a signal beyond the last button is dropped.
    pub fn observe(&mut self, signals: &Vec<InteractionState>)
        ensures
            final(self)@ == old(self)@.observe(signals@),
            old(self)@.wf() ==> final(self)@.wf(),
    {
        proof {
            self.stats.lemma_bounds();
            self.lemma_buttons_well_formed();
        }
        let mut i: usize = 0;
        while i < self.buttons.len() && i < signals.len()
            invariant
                i <= self.buttons@.len(),
                i <= signals@.len(),
                self.buttons@.len() == old(self).buttons@.len(),
                self.stats == old(self).stats,
                self.queue == old(self).queue,
                self.coins_label == old(self).coins_label,
                self.damage_label == old(self).damage_label,
                self.speed_label == old(self).speed_label,
                self.status_label == old(self).status_label,
                old(self)@.wf() ==> forall|j: int|
                    0 <= j < self.buttons@.len() ==> (#[trigger] self.buttons@[j])@.wf(),
                forall|j: int|
                    0 <= j < self.buttons@.len() ==> (#[trigger] self.buttons@[j])@ == (if j < i {
                        old(self).buttons@[j]@.observing(signals@[j])
                    } else {
                        old(self).buttons@[j]@
                    }),
            decreases self.buttons@.len() - i,
        {
            let mut button = self.buttons[i];
            button.set_interaction(signals[i]);
            self.buttons.set(i, button);
            i += 1;
        }
        assert(self@.buttons =~= old(self)@.observe(signals@).buttons);
    }

    /// Runs one phase of a frame.
    pub fn run_phase(&mut self, set: ShopSystemSet, click_edge: bool)
        ensures
            final(self)@ == old(self)@.phase(set, click_edge),
            old(self)@.wf() ==> final(self)@.wf(),
    {
        match set {
            ShopSystemSet::Input => handle_shop_buttons(self, click_edge),
            ShopSystemSet::Update => handle_purchases(self),
            ShopSystemSet::Display => update_shop_ui(self),
        }
    }

    /// Runs one frame while the game is played: the input phase, then the
    /// update phase, then the display phase, each to its end before the next.
    pub fn run_frame(&mut self, state: GameState, click_edge: bool)
        ensures
            final(self)@ == old(self)@.frame(click_edge),
            old(self)@.wf() ==> final(self)@.wf(),
            0 <= final(self)@.stats.coins <= old(self)@.stats.coins,
    {
        match state {
            GameState::Playing => {
                handle_shop_buttons(self, click_edge);
                proof {
                    lemma_upgrades_keep_coins(self@.stats, self@.queue);
                }
                handle_purchases(self);
                update_shop_ui(self);
            },
        }
    }
}

/// The input phase. Each button whose interaction changed since it was last
/// seen is restyled. A change to `Pressed` in a frame with a click edge
/// attempts the purchase: where the player can afford it the cost is paid at
/// once, the upgrade is queued and the status label reads "Purchase
/// Successful"; where not, nothing is paid and it reads "Not enough coins!".
pub fn handle_shop_buttons(shop: &mut Shop, click_edge: bool)
    ensures
        final(shop)@ == old(shop)@.input(click_edge),
        old(shop)@.wf() ==> final(shop)@.wf(),
        0 <= final(shop)@.stats.coins <= old(shop)@.stats.coins,
{
    proof {
        shop.lemma_buttons_well_formed();
    }
    let mut i: usize = 0;
    while i < shop.buttons.len()
        invariant
            i <= shop.buttons@.len(),
            shop.stats@.coins <= old(shop).stats@.coins,
            old(shop)@.wf() ==> forall|j: int|
                0 <= j < shop.buttons@.len() ==> (#[trigger] shop.buttons@[j])@.wf(),
            shop.buttons@.len() == old(shop).buttons@.len(),
            shop@ == old(shop)@.input_upto(i as nat, click_edge),
        decreases shop.buttons@.len() - i,
    {
        let ghost before = shop@;
        let mut button = shop.buttons[i];
        proof {
            button.lemma_cost_bounds();
        }
        let outcome = button.handle(click_edge, &mut shop.stats);
        shop.buttons.set(i, button);
        if outcome == ButtonOutcome::Purchased {
            shop.queue.push(PurchaseEvent { upgrade_type: button.upgrade_type() });
        }
        if shop.status_label.is_some() {
            match status_label(outcome) {
                Some(text) => {
                    shop.status_label = Some(text);
                },
                None => {},
            }
        }
        proof {
            let after = before.press(i as int, click_edge);
            assert(shop@.buttons =~= after.buttons);
            assert(shop@.queue =~= after.queue);
            assert(shop@ == after);
        }
        i += 1;
    }
    proof {
        shop.stats.lemma_bounds();
    }
}

/// The update phase. Applies every queued upgrade, oldest first, and leaves
/// the queue empty. The coins are not touched: they were paid in the input
/// phase.
pub fn handle_purchases(shop: &mut Shop)
    ensures
        final(shop)@ == old(shop)@.update(),
        old(shop)@.wf() ==> final(shop)@.wf(),
{
    let mut i: usize = 0;
    while i < shop.queue.len()
        invariant
            i <= shop.queue@.len(),
            shop.queue == old(shop).queue,
            shop.buttons == old(shop).buttons,
            shop.coins_label == old(shop).coins_label,
            shop.damage_label == old(shop).damage_label,
            shop.speed_label == old(shop).speed_label,
            shop.status_label == old(shop).status_label,
            shop.stats@ == apply_all(old(shop).stats@, shop.queue@.take(i as int)),
        decreases shop.queue@.len() - i,
    {
        let event = shop.queue[i];
        shop.stats.apply_upgrade(event.upgrade_type);
        proof {
            let next = shop.queue@.take(i + 1);
            assert(next.drop_last() =~= shop.queue@.take(i as int));
            assert(next.last() == event);
        }
        i += 1;
    }
    assert(shop.queue@.take(i as int) =~= shop.queue@);
    shop.queue.clear();
    proof {
        shop.stats.lemma_bounds();
    }
    assert(shop@.queue =~= Seq::empty());
}

/// The display phase. Writes coins, damage and speed into their labels,
/// whether or not they changed. A label that is absent is skipped.
pub fn update_shop_ui(shop: &mut Shop)
    ensures
        final(shop)@ == old(shop)@.display(),
        old(shop)@.wf() ==> final(shop)@.wf(),
{
    proof {
        shop.stats.lemma_bounds();
    }
    if shop.coins_label.is_some() {
        shop.coins_label = Some(coins_label(&shop.stats));
    }
    if shop.damage_label.is_some() {
        shop.damage_label = Some(damage_label(&shop.stats));
    }
    if shop.speed_label.is_some() {
        shop.speed_label = Some(speed_label(&shop.stats));
    }
}

/// Sets up the three statistic labels. They show the statistics of a new
/// player until the first display phase.
pub fn spawn_stats_display(parent: &mut Shop)
    ensures
        final(parent)@ == old(parent)@.with_stats_display(),
        old(parent)@.wf() ==> final(parent)@.wf(),
{
    proof {
        parent.stats.lemma_bounds();
    }
    let opening = PlayerStats::default();
    parent.coins_label = Some(coins_label(&opening));
    parent.damage_label = Some(damage_label(&opening));
    parent.speed_label = Some(speed_label(&opening));
}

/// Sets up the button that sells one entry of the catalog, behind the
/// buttons already there. The button starts idle.
pub fn spawn_shop_button(parent: &mut Shop, definition: &UpgradeDefinition)
    ensures
        final(parent)@ == old(parent)@.with_button(definition.upgrade_type, definition.cost as int),
        old(parent)@.wf() ==> final(parent)@.wf(),
{
    proof {
        parent.stats.lemma_bounds();
    }
    parent.buttons.push(ShopButton::new(definition.upgrade_type, definition.cost));
    assert(parent@.buttons =~= old(parent)@.buttons.push(
        fresh_button(definition.upgrade_type, definition.cost as int),
    ));
}

/// Sets up the shop's panel: the statistic labels, one button for each
/// entry of the catalog, and the status label.
pub fn setup_shop(shop: &mut Shop)
    ensures
        final(shop)@ == old(shop)@.set_up(),
        old(shop)@.wf() ==> final(shop)@.wf(),
{
    spawn_stats_display(shop);
    let catalog = shop_catalog();
    spawn_shop_button(shop, &catalog[0]);
    spawn_shop_button(shop, &catalog[1]);
    shop.status_label = Some(initial_status_label());
}

/// Builds the shop of a new game.
pub struct ShopPlugin;

impl ShopPlugin {
    /// A shop ready for its first frame: a new player's statistics, no
    /// purchase queued, and the panel set up.
    pub fn build(&self) -> (shop: Shop)
        ensures
            shop@ == ShopModel::opening(),
            shop@.wf(),
    {
        let mut shop = Shop::new(PlayerStats::default());
        setup_shop(&mut shop);
        shop
    }
}

} // verus!

//! What holds of the shop over every state and every input.

use vstd::prelude::*;
use crate::button::{ButtonOutcome, InteractionState};
use crate::model::{apply_all, FrameInput, PurchaseEvent, ShopModel};
use crate::stats::{raised, StatsModel};
use crate::upgrade::{UpgradeType, DAMAGE_STEP, SPEED_STEP, STAT_CEILING};

verus! {

/// The update phase never touches the coins.
pub proof fn lemma_upgrades_keep_coins(stats: StatsModel, queue: Seq<PurchaseEvent>)
    ensures
        apply_all(stats, queue).coins == stats.coins,
    decreases queue.len(),
{
    if queue.len() > 0 {
        lemma_upgrades_keep_coins(stats, queue.drop_last());
    }
}

/// How many of the queued purchases are for the given upgrade.
pub open spec fn purchases_of(queue: Seq<PurchaseEvent>, upgrade: UpgradeType) -> int
    decreases queue.len(),
{
    if queue.len() == 0 {
        0
    } else if queue.last().upgrade_type == upgrade {
        purchases_of(queue.drop_last(), upgrade) + 1
    } else {
        purchases_of(queue.drop_last(), upgrade)
    }
}

/// A value held at the ceiling of a statistic.
pub open spec fn capped(value: int) -> int {
    if value > STAT_CEILING as int {
        STAT_CEILING as int
    } else {
        value
    }
}

/// Every queued purchase takes effect exactly once: the update phase raises
/// each statistic by its step times the number of purchases queued for it,
/// up to the ceiling.
pub proof fn lemma_each_upgrade_applied_once(stats: StatsModel, queue: Seq<PurchaseEvent>)
    requires
        stats.damage <= STAT_CEILING,
        stats.speed <= STAT_CEILING,
    ensures
        apply_all(stats, queue).damage == capped(
            stats.damage + DAMAGE_STEP * purchases_of(queue, UpgradeType::Damage),
        ),
        apply_all(stats, queue).speed == capped(
            stats.speed + SPEED_STEP * purchases_of(queue, UpgradeType::Speed),
        ),
        apply_all(stats, queue).coins == stats.coins,
        purchases_of(queue, UpgradeType::Damage) + purchases_of(queue, UpgradeType::Speed)
            == queue.len(),
    decreases queue.len(),
{
    if queue.len() > 0 {
        lemma_each_upgrade_applied_once(stats, queue.drop_last());
    }
}

/// A queue of one purchase applies its upgrade exactly once.
pub proof fn lemma_single_upgrade(stats: StatsModel, queue: Seq<PurchaseEvent>)
    requires
        queue.len() == 1,
    ensures
        apply_all(stats, queue) == stats.upgraded(queue[0].upgrade_type),
{
    assert(queue.drop_last().len() == 0);
    assert(apply_all(stats, queue.drop_last()) == stats);
}

/// The input phase keeps the number of buttons, leaves the buttons it has not
/// reached, the statistics and the statistic labels as they were, and takes
/// a well-formed shop to a well-formed one that holds no more coins.
proof fn lemma_input_upto(s: ShopModel, n: nat, click_edge: bool)
    requires
        n <= s.buttons.len(),
    ensures
        ({
            let r = s.input_upto(n, click_edge);
            &&& r.buttons.len() == s.buttons.len()
            &&& forall|j: int| n <= j < s.buttons.len() ==> r.buttons[j] == s.buttons[j]
            &&& r.stats.damage == s.stats.damage
            &&& r.stats.speed == s.stats.speed
            &&& r.labels.coins == s.labels.coins
            &&& r.labels.damage == s.labels.damage
            &&& r.labels.speed == s.labels.speed
            &&& s.wf() ==> r.wf() && r.stats.coins <= s.stats.coins
        }),
    decreases n,
{
    if n > 0 {
        lemma_input_upto(s, (n - 1) as nat, click_edge);
        let p = s.input_upto((n - 1) as nat, click_edge);
        let r = p.press(n - 1, click_edge);
        assert(r == s.input_upto(n, click_edge));
        if s.wf() {
            assert(p.buttons[n - 1].wf());
            assert forall|i: int| 0 <= i < r.buttons.len() implies (#[trigger] r.buttons[i]).wf() by {
                if i != n - 1 {
                    assert(r.buttons[i] == p.buttons[i]);
                }
            }
        }
    }
}

/// Conservation, at the button: a purchase takes exactly the button's cost
/// from the coins and queues exactly one request, for the button's upgrade,
/// behind those already waiting.
pub proof fn lemma_purchase_pays_once(s: ShopModel, i: int, click_edge: bool)
    requires
        0 <= i < s.buttons.len(),
        s.outcome_at(i, click_edge) == ButtonOutcome::Purchased,
    ensures
        s.press(i, click_edge).stats.coins == s.stats.coins - s.buttons[i].cost,
        s.press(i, click_edge).queue == s.queue.push(
            PurchaseEvent { upgrade_type: s.buttons[i].upgrade_type },
        ),
{
}

/// A declined or unattempted purchase takes no coins and queues nothing.
pub proof fn lemma_no_purchase_is_free(s: ShopModel, i: int, click_edge: bool)
    requires
        0 <= i < s.buttons.len(),
        s.outcome_at(i, click_edge) != ButtonOutcome::Purchased,
    ensures
        s.press(i, click_edge).stats == s.stats,
        s.press(i, click_edge).queue == s.queue,
{
}

/// Whether button `i` is the only one whose interaction changed.
pub open spec fn only_changed(s: ShopModel, i: int) -> bool {
    &&& 0 <= i < s.buttons.len()
    &&& forall|j: int| 0 <= j < s.buttons.len() && j != i ==> !(#[trigger] s.buttons[j]).changed()
}

/// A button that is not processed leaves the shop as it was.
proof fn lemma_ignored(s: ShopModel, i: int, click_edge: bool)
    requires
        0 <= i < s.buttons.len(),
        !s.buttons[i].changed(),
    ensures
        s.press(i, click_edge) == s,
{
    assert(s.press(i, click_edge).buttons =~= s.buttons);
}

/// With no interaction changed, the input phase changes nothing.
pub proof fn lemma_input_without_change(s: ShopModel, click_edge: bool)
    requires
        forall|j: int| 0 <= j < s.buttons.len() ==> !(#[trigger] s.buttons[j]).changed(),
    ensures
        s.input(click_edge) == s,
{
    lemma_input_prefix_without_change(s, s.buttons.len(), click_edge);
}

proof fn lemma_input_prefix_without_change(s: ShopModel, n: nat, click_edge: bool)
    requires
        n <= s.buttons.len(),
        forall|j: int| 0 <= j < n ==> !(#[trigger] s.buttons[j]).changed(),
    ensures
        s.input_upto(n, click_edge) == s,
    decreases n,
{
    if n > 0 {
        lemma_input_prefix_without_change(s, (n - 1) as nat, click_edge);
        lemma_ignored(s, n - 1, click_edge);
    }
}

/// With one interaction changed, the input phase is what it does with that
/// one button.
pub proof fn lemma_input_with_one_change(s: ShopModel, i: int, click_edge: bool)
    requires
        only_changed(s, i),
    ensures
        s.input(click_edge) == s.press(i, click_edge),
{
    lemma_input_prefix_without_change(s, i as nat, click_edge);
    let pressed = s.press(i, click_edge);
    assert(s.input_upto((i + 1) as nat, click_edge) == pressed);
    lemma_input_suffix_without_change(s, i, s.buttons.len(), click_edge);
}

proof fn lemma_input_suffix_without_change(s: ShopModel, i: int, n: nat, click_edge: bool)
    requires
        only_changed(s, i),
        i < n <= s.buttons.len(),
        s.input_upto((i + 1) as nat, click_edge) == s.press(i, click_edge),
    ensures
        s.input_upto(n, click_edge) == s.press(i, click_edge),
    decreases n,
{
    if n > i + 1 {
        lemma_input_suffix_without_change(s, i, (n - 1) as nat, click_edge);
        let pressed = s.press(i, click_edge);
        assert(pressed.buttons[n - 1] == s.buttons[n - 1]);
        lemma_ignored(pressed, n - 1, click_edge);
    }
}

/// Conservation, over a frame: where one button alone changed, to a press
/// that the player can afford in a frame with a click edge, and nothing was
/// waiting in the queue, the frame takes exactly the cost from the coins
/// and applies the button's upgrade exactly once.
pub proof fn lemma_purchase_conserves(s: ShopModel, i: int)
    requires
        only_changed(s, i),
        s.queue.len() == 0,
        s.buttons[i].changed(),
        s.buttons[i].interaction == InteractionState::Pressed,
        s.stats.affords(s.buttons[i].cost),
    ensures
        s.frame(true).stats == s.stats.pay(s.buttons[i].cost).upgraded(s.buttons[i].upgrade_type),
        s.frame(true).stats.coins == s.stats.coins - s.buttons[i].cost,
        s.frame(true).queue.len() == 0,
{
    lemma_input_with_one_change(s, i, true);
    let paid = s.press(i, true);
    assert(s.outcome_at(i, true) == ButtonOutcome::Purchased);
    lemma_single_upgrade(paid.stats, paid.queue);
}

/// A frame takes a well-formed shop to a well-formed one that holds no more
/// coins than before: the coins never fall below zero and never grow.
pub proof fn lemma_frame_keeps_coins_in_range(s: ShopModel, click_edge: bool)
    requires
        s.wf(),
    ensures
        s.frame(click_edge).wf(),
        0 <= s.frame(click_edge).stats.coins <= s.stats.coins,
{
    lemma_input_upto(s, s.buttons.len(), click_edge);
    let entered = s.input(click_edge);
    lemma_upgrades_keep_coins(entered.stats, entered.queue);
}

/// The coins are never negative: after any run of frames, whatever was
/// pressed and whether each attempt was paid or declined, a shop that was
/// well formed still is, and it holds no more coins than it began with.
pub proof fn lemma_coins_never_negative(s: ShopModel, frames: Seq<FrameInput>)
    requires
        s.wf(),
    ensures
        s.run(frames).wf(),
        0 <= s.run(frames).stats.coins <= s.stats.coins,
    decreases frames.len(),
{
    if frames.len() > 0 {
        lemma_coins_never_negative(s, frames.drop_last());
        let before = s.run(frames.drop_last());
        let seen = before.observe(frames.last().signals);
        assert forall|i: int| 0 <= i < seen.buttons.len() implies (#[trigger] seen.buttons[i]).wf() by {
            assert(before.buttons[i].wf());
        }
        lemma_frame_keeps_coins_in_range(seen, frames.last().click_edge);
    }
}

/// Whether `signals` report button `i` as pressed and every other button as
/// it was last seen in `s`.
pub open spec fn holds_pressed(s: ShopModel, i: int, signals: Seq<InteractionState>) -> bool {
    &&& 0 <= i < s.buttons.len()
    &&& signals.len() == s.buttons.len()
    &&& signals[i] == InteractionState::Pressed
    &&& forall|j: int|
        0 <= j < s.buttons.len() && j != i ==> #[trigger] signals[j] == s.buttons[j].seen
}

/// The statistics after one attempt to buy from button `i`: paid for and
/// applied where the player can afford it, untouched where not.
pub open spec fn after_one_attempt(s: ShopModel, i: int) -> StatsModel {
    if s.stats.affords(s.buttons[i].cost) {
        s.stats.pay(s.buttons[i].cost).upgraded(s.buttons[i].upgrade_type)
    } else {
        s.stats
    }
}

/// Whether `r` is `s` after a press on button `i` was processed once and
/// nothing else happened to the statistics, the queue or what was seen of
/// the other buttons.
spec fn pressed_once(s: ShopModel, i: int, r: ShopModel) -> bool {
    &&& r.buttons.len() == s.buttons.len()
    &&& r.buttons[i].seen == InteractionState::Pressed
    &&& forall|j: int|
        0 <= j < s.buttons.len() && j != i ==> (#[trigger] r.buttons[j]).seen == s.buttons[j].seen
    &&& r.queue.len() == 0
    &&& r.stats == after_one_attempt(s, i)
}

proof fn lemma_held_frames(s: ShopModel, i: int, frames: Seq<FrameInput>)
    requires
        0 <= i < s.buttons.len(),
        s.buttons[i].seen != InteractionState::Pressed,
        s.queue.len() == 0,
        frames.len() >= 1,
        forall|k: int| 0 <= k < frames.len() ==> holds_pressed(s, i, (#[trigger] frames[k]).signals),
        frames[0].click_edge,
    ensures
        pressed_once(s, i, s.run(frames)),
    decreases frames.len(),
{
    let last = frames.last();
    assert(holds_pressed(s, i, last.signals));
    let before = s.run(frames.drop_last());
    let t = before.observe(last.signals);
    if frames.len() == 1 {
        assert(before == s);
        assert(last.click_edge);
        assert forall|j: int| 0 <= j < t.buttons.len() && j != i implies !(#[trigger] t.buttons[j]).changed() by {
            assert(last.signals[j] == s.buttons[j].seen);
        }
        lemma_input_with_one_change(t, i, true);
        let paid = t.press(i, true);
        if s.stats.affords(s.buttons[i].cost) {
            lemma_single_upgrade(paid.stats, paid.queue);
        }
        assert(pressed_once(s, i, t.frame(true)));
    } else {
        assert forall|k: int| 0 <= k < frames.drop_last().len() implies holds_pressed(
            s,
            i,
            (#[trigger] frames.drop_last()[k]).signals,
        ) by {
            assert(frames.drop_last()[k] == frames[k]);
        }
        lemma_held_frames(s, i, frames.drop_last());
        assert forall|j: int| 0 <= j < t.buttons.len() implies !(#[trigger] t.buttons[j]).changed() by {
            if j != i {
                assert(last.signals[j] == s.buttons[j].seen);
                assert(before.buttons[j].seen == s.buttons[j].seen);
            }
        }
        lemma_input_without_change(t, last.click_edge);
        assert(pressed_once(s, i, t.frame(last.click_edge)));
    }
}

/// No double spend: a button held pressed over any number of frames, with
/// the click edge set in the first of them, is paid for once and its
/// upgrade is applied once, whatever the click edge does afterwards. Where
/// the player cannot afford it, nothing is paid and nothing applied.
pub proof fn lemma_sustained_press_pays_once(s: ShopModel, i: int, frames: Seq<FrameInput>)
    requires
        0 <= i < s.buttons.len(),
        s.buttons[i].seen != InteractionState::Pressed,
        s.queue.len() == 0,
        frames.len() >= 1,
        forall|k: int| 0 <= k < frames.len() ==> holds_pressed(s, i, (#[trigger] frames[k]).signals),
        frames[0].click_edge,
    ensures
        s.run(frames).stats == after_one_attempt(s, i),
        s.run(frames).stats == s.run(frames.take(1)).stats,
        s.run(frames).queue.len() == 0,
{
    lemma_held_frames(s, i, frames);
    lemma_held_frames(s, i, frames.take(1));
}

/// The display phase is idempotent: run again on unchanged statistics it
/// writes the same text into every label.
pub proof fn lemma_display_idempotent(s: ShopModel)
    ensures
        s.display().display() == s.display(),
{
}

/// The display phase reads nothing but the statistics: two shops with the
/// same statistics and the same labels present show the same texts.
pub proof fn lemma_display_shows_stats(s: ShopModel, t: ShopModel)
    requires
        s.stats == t.stats,
        s.labels.coins.is_some() == t.labels.coins.is_some(),
        s.labels.damage.is_some() == t.labels.damage.is_some(),
        s.labels.speed.is_some() == t.labels.speed.is_some(),
    ensures
        s.display().labels.coins == t.display().labels.coins,
        s.display().labels.damage == t.display().labels.damage,
        s.display().labels.speed == t.display().labels.speed,
{
}

/// The queue is first in, first out: the update phase applies what was
/// queued earlier before what was queued later.
pub proof fn lemma_upgrades_in_arrival_order(
    stats: StatsModel,
    earlier: Seq<PurchaseEvent>,
    later: Seq<PurchaseEvent>,
)
    ensures
        apply_all(stats, earlier + later) == apply_all(apply_all(stats, earlier), later),
    decreases later.len(),
{
    if later.len() == 0 {
        assert(earlier + later =~= earlier);
    } else {
        lemma_upgrades_in_arrival_order(stats, earlier, later.drop_last());
        assert((earlier + later).drop_last() =~= earlier + later.drop_last());
    }
}

/// A damage purchase queued before a speed purchase: damage is raised first,
/// then speed, each exactly once, and the coins are left alone.
pub proof fn lemma_damage_then_speed(stats: StatsModel)
    ensures
        apply_all(
            stats,
            seq![
                PurchaseEvent { upgrade_type: UpgradeType::Damage },
                PurchaseEvent { upgrade_type: UpgradeType::Speed },
            ],
        ) == stats.upgraded(UpgradeType::Damage).upgraded(UpgradeType::Speed),
        stats.upgraded(UpgradeType::Damage).upgraded(UpgradeType::Speed) == (StatsModel {
            coins: stats.coins,
            damage: raised(stats.damage, DAMAGE_STEP as int),
            speed: raised(stats.speed, SPEED_STEP as int),
        }),
{
    let damage = PurchaseEvent { upgrade_type: UpgradeType::Damage };
    let speed = PurchaseEvent { upgrade_type: UpgradeType::Speed };
    let queue = seq![damage, speed];
    assert(queue.drop_last() =~= seq![damage]);
    lemma_single_upgrade(stats, seq![damage]);
}

} // verus!

//! An in-game shop: a player spends coins on permanent upgrades to damage and
//! speed. Each rendered frame runs three phases in a fixed order: the input
//! phase turns button interaction into coin deductions and queued purchases,
//! the update phase applies the queued upgrades, and the display phase writes
//! the player's statistics into the on-screen labels.
//!
//! Statistics are held in tenths, so that a speed of 1.2 is the integer 12 and
//! every step of the shop is exact.

pub mod upgrade;
pub mod stats;
pub mod button;
pub mod labels;
pub mod model;
pub mod shop;
pub mod laws;

pub use button::{ButtonOutcome, InteractionState, ShopButton, Tint};
pub use model::{GameState, PurchaseEvent, ShopSystemSet};
pub use shop::{
    handle_purchases, handle_shop_buttons, setup_shop, shop_catalog, spawn_shop_button,
    spawn_stats_display, update_shop_ui, Shop, ShopPlugin, UpgradeDefinition,
};
pub use stats::PlayerStats;
pub use upgrade::UpgradeType;

//! Progression and economy rules for a game's user profiles and inventories,
//! shared by every host server through a narrow boundary.
pub mod boundary;
pub mod curve;
pub mod laws;
pub mod schemas;
pub mod types;

pub use boundary::{
    add_exp_report, calculate_required_exp, profile_text, BoundaryError, ExpReport,
};
pub use schemas::schemas::{Inventory, Item, Profile, Properties, Schemas};
pub use types::{
    InventoryEntity, InventoryEntityExt, ItemProperties, LevelProgress, ProfileEntity,
    ProfileEntityExt, UserAggregates, UserAggregatesExt, MAX_CURRENCY, MAX_LEVEL,
};

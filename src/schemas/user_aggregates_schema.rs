//! A user's profile and inventory as one record.
use std::collections::HashMap;
use vstd::prelude::*;

verus! {

/// Complete user data aggregates containing all game content.
#[derive(Debug)]
pub struct UserAggregatesSchema {
    /// User inventory information
    pub inventory: InventoryEntity,
    /// User profile information
    pub profile: ProfileEntity,
}

/// User inventory information entity.
#[derive(Debug)]
pub struct InventoryEntity {
    /// Maximum inventory capacity
    pub capacity: i64,
    /// Gem amount
    pub gems: i64,
    /// Gold amount
    pub gold: i64,
    /// List of items in inventory
    pub items: Vec<Item>,
}

#[derive(Debug)]
pub struct Item {
    /// Item identifier
    pub id: String,
    /// Item level (optional)
    pub level: Option<i64>,
    /// Additional item properties
    pub properties: Option<HashMap<String, Option<serde_json::Value>>>,
    /// Item quantity
    pub quantity: i64,
    /// Item rarity (optional)
    pub rarity: Option<Rarity>,
}

/// Item rarity (optional)
#[derive(Clone, Copy, Debug, PartialEq, Eq)]
pub enum Rarity {
    Common,
    Epic,
    Legendary,
    Rare,
    Uncommon,
}

/// User profile information entity.
#[derive(Clone, Debug)]
pub struct ProfileEntity {
    /// Avatar identifier
    pub avatar: String,
    /// Account creation timestamp
    pub created_at: String,
    /// Experience points
    pub exp: i64,
    /// User level
    pub level: i64,
    /// User nickname
    pub nickname: String,
}

} // verus!

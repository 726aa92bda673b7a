//! The inventory record as a standalone entity.
use std::collections::HashMap;
use vstd::prelude::*;

verus! {

/// An arbitrary JSON value, carried through untouched.
#[verifier::external_type_specification]
#[verifier::external_body]
pub struct ExJsonValue(serde_json::Value);

/// User inventory information entity.
#[derive(Debug)]
pub struct InventoryEntitySchema {
    /// Maximum inventory capacity
    pub capacity: i64,
    /// Gem amount
    pub gems: i64,
    /// Gold amount
    pub gold: i64,
    /// List of items in inventory
    pub items: Vec<Item>,
}

#[derive(Debug)]
pub struct Item {
    /// Item identifier
    pub id: String,
    /// Item level (optional)
    pub level: Option<i64>,
    /// Additional item properties
    pub properties: Option<HashMap<String, Option<serde_json::Value>>>,
    /// Item quantity
    pub quantity: i64,
    /// Item rarity (optional)
    pub rarity: Option<Rarity>,
}

/// Item rarity (optional)
#[derive(Clone, Copy, Debug, PartialEq, Eq)]
pub enum Rarity {
    Common,
    Epic,
    Legendary,
    Rare,
    Uncommon,
}

} // verus!

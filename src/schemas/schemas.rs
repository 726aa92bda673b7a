//! The records the progression and economy rules work on.
use vstd::prelude::*;

verus! {

/// A user's profile and inventory, owned together for one call.
pub struct Schemas {
    pub profile: Profile,
    pub inventory: Inventory,
}

/// Currency balances and the items a user holds.
#[derive(Clone, Debug)]
pub struct Inventory {
    pub items: Vec<Item>,
    pub gold: i64,
    pub gems: i64,
    pub capacity: i64,
}

impl Inventory {
    /// An inventory without items.
    pub fn new(gold: i64, gems: i64, capacity: i64) -> (r: Inventory)
        ensures
            r.items@.len() == 0,
            r.gold == gold,
            r.gems == gems,
            r.capacity == capacity,
    {
        Inventory { items: Vec::new(), gold, gems, capacity }
    }

    pub fn gold(&self) -> (r: i64)
        ensures
            r == self.gold,
    {
        self.gold
    }

    pub fn set_gold(&mut self, gold: i64)
        ensures
            *final(self) == (Inventory { gold, ..*old(self) }),
    {
        self.gold = gold;
    }

    pub fn gems(&self) -> (r: i64)
        ensures
            r == self.gems,
    {
        self.gems
    }

    pub fn set_gems(&mut self, gems: i64)
        ensures
            *final(self) == (Inventory { gems, ..*old(self) }),
    {
        self.gems = gems;
    }

    pub fn capacity(&self) -> (r: i64)
        ensures
            r == self.capacity,
    {
        self.capacity
    }

    pub fn set_capacity(&mut self, capacity: i64)
        ensures
            *final(self) == (Inventory { capacity, ..*old(self) }),
    {
        self.capacity = capacity;
    }
}

/// One stack of items; the rules never look inside it.
#[derive(Clone, Debug)]
pub struct Item {
    pub id: String,
    pub quantity: i64,
    pub level: Option<i64>,
    pub rarity: Option<String>,
    pub properties: Option<Properties>,
}

/// Combat figures attached to an item.
#[derive(Clone, Debug)]
pub struct Properties {
    pub attack: i64,
    pub durability: i64,
}

/// A user's identity and progression.
#[derive(Clone, Debug)]
pub struct Profile {
    pub nickname: String,
    pub level: i64,
    pub exp: i64,
    pub avatar: String,
    pub created_at: String,
}

impl Profile {
    pub fn new(nickname: String, level: i64, exp: i64, avatar: String, created_at: String) -> (r:
        Profile)
        ensures
            r.nickname@ == nickname@,
            r.level == level,
            r.exp == exp,
            r.avatar@ == avatar@,
            r.created_at@ == created_at@,
    {
        Profile { nickname, level, exp, avatar, created_at }
    }

    pub fn nickname(&self) -> (r: String)
        ensures
            r@ == self.nickname@,
    {
        self.nickname.clone()
    }

    pub fn set_nickname(&mut self, nickname: String)
        ensures
            *final(self) == (Profile { nickname, ..*old(self) }),
    {
        self.nickname = nickname;
    }

    pub fn level(&self) -> (r: i64)
        ensures
            r == self.level,
    {
        self.level
    }

    pub fn set_level(&mut self, level: i64)
        ensures
            *final(self) == (Profile { level, ..*old(self) }),
    {
        self.level = level;
    }

    pub fn exp(&self) -> (r: i64)
        ensures
            r == self.exp,
    {
        self.exp
    }

    pub fn set_exp(&mut self, exp: i64)
        ensures
            *final(self) == (Profile { exp, ..*old(self) }),
    {
        self.exp = exp;
    }

    pub fn avatar(&self) -> (r: String)
        ensures
            r@ == self.avatar@,
    {
        self.avatar.clone()
    }

    pub fn set_avatar(&mut self, avatar: String)
        ensures
            *final(self) == (Profile { avatar, ..*old(self) }),
    {
        self.avatar = avatar;
    }

    pub fn created_at(&self) -> (r: String)
        ensures
            r@ == self.created_at@,
    {
        self.created_at.clone()
    }

    pub fn set_created_at(&mut self, created_at: String)
        ensures
            *final(self) == (Profile { created_at, ..*old(self) }),
    {
        self.created_at = created_at;
    }
}

} // verus!

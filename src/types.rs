//! The progression, economy and reward rules, attached to the entity records.
#![allow(non_snake_case)]

use vstd::prelude::*;
use vstd::string::StrSliceExecFns;

pub use crate::schemas::schemas::{
    Inventory as InventoryEntity,
    Item,
    Profile as ProfileEntity,
    Properties as ItemProperties,
    Schemas as UserAggregates,
};

use crate::curve::{lemma_required_exp_monotone, lemma_required_exp_small, required_exp, required_exp_exact};

verus! {

/// Highest level a profile can reach.
pub const MAX_LEVEL: i64 = 100;

/// Largest balance of either currency.
pub const MAX_CURRENCY: i64 = 999_999_999;

/// The level reached from `level` by climbing while `exp` covers the next
/// level's threshold, stopping at `MAX_LEVEL`.
pub open spec fn settled_level(level: int, exp: int) -> int
    decreases MAX_LEVEL - level,
{
    if level < MAX_LEVEL && exp >= required_exp(level + 1) {
        settled_level(level + 1, exp)
    } else {
        level
    }
}

/// `level` is the one level that `exp` earns: its threshold is covered and the
/// next one is not, unless it is the last level.
pub open spec fn is_earned_level(level: int, exp: int) -> bool {
    &&& 1 <= level <= MAX_LEVEL
    &&& required_exp(level) <= exp
    &&& (level == MAX_LEVEL || exp < required_exp(level + 1))
}

/// Experience still missing to reach the next level.
pub open spec fn exp_to_next(level: int, exp: int) -> int {
    if level >= MAX_LEVEL || exp >= required_exp(level + 1) {
        0
    } else {
        required_exp(level + 1) - exp
    }
}

/// How far a profile has come through its current level.
#[derive(Clone, Copy, Debug, PartialEq, Eq)]
pub enum LevelProgress {
    /// The last level is reached, or the level spans no experience at all.
    Complete,
    /// `earned` of the `span` points of experience that the level spans.
    Partial { earned: i128, span: u64 },
}

/// Progress through `level` with `exp`: `(exp - R(level)) / (R(level + 1) - R(level))`.
pub open spec fn progress_of(level: int, exp: int) -> LevelProgress {
    let span = required_exp(level + 1) - required_exp(level);
    if level >= MAX_LEVEL || span == 0 {
        LevelProgress::Complete
    } else {
        LevelProgress::Partial { earned: (exp - required_exp(level)) as i128, span: span as u64 }
    }
}

/// `balance` after an attempt to add `amount`: unchanged where the cap would be passed.
pub open spec fn credited(balance: int, amount: int) -> int {
    if balance + amount <= MAX_CURRENCY {
        balance + amount
    } else {
        balance
    }
}

/// `balance` after an attempt to take `amount`: unchanged where it would go negative.
pub open spec fn debited(balance: int, amount: int) -> int {
    if amount <= balance {
        balance - amount
    } else {
        balance
    }
}

/// Gold granted for reaching `new_level` from `old_level` in one step.
pub open spec fn gold_reward(old_level: int, new_level: int) -> int {
    100 * (new_level - old_level) * new_level
}

/// `settled_level` only climbs, and never past the last level unless it started there.
pub proof fn lemma_settled_level_bounds(level: int, exp: int)
    ensures
        settled_level(level, exp) >= level,
        level <= MAX_LEVEL ==> settled_level(level, exp) <= MAX_LEVEL,
    decreases MAX_LEVEL - level,
{
    if level < MAX_LEVEL && exp >= required_exp(level + 1) {
        lemma_settled_level_bounds(level + 1, exp);
    }
}

/// Cumulative experience for `level`, for any level up to the last.
fn required_at(level: i64) -> (r: u64)
    requires
        level <= MAX_LEVEL,
    ensures
        r as nat == required_exp(level as int),
        r <= 10_000_000_000,
{
    proof {
        lemma_required_exp_small(level as int);
    }
    if level <= 1 {
        0
    } else {
        required_exp_exact(level as u32)
    }
}

/// `required_exp` saturated to the range of `u32`.
pub open spec fn required_exp_u32(level: int) -> int {
    if required_exp(level) <= u32::MAX {
        required_exp(level) as int
    } else {
        u32::MAX as int
    }
}

/// Leveling rules of a profile.
pub trait ProfileEntityExt: Sized {
    /// Adding `exp_to_add` keeps the experience within its integer type.
    spec fn exp_gain_fits(&self, exp_to_add: u32) -> bool;

    /// Adds experience and climbs levels; true when the level rose.
    fn AddExp(&mut self, exp_to_add: u32) -> bool
        requires
            old(self).exp_gain_fits(exp_to_add),
    ;

    /// Cumulative experience that `target_level` asks for, saturated to `u32`.
    fn CalculateRequiredExpForLevel(&self, target_level: u32) -> u32;

    /// Experience still missing to reach the next level.
    fn GetExpToNextLevel(&self) -> u64;

    /// Progress through the current level.
    fn GetLevelProgress(&self) -> LevelProgress;

    /// Nickname and avatar are present and short enough, and the level is in range.
    fn IsValid(&self) -> bool;
}

impl ProfileEntityExt for ProfileEntity {
    open spec fn exp_gain_fits(&self, exp_to_add: u32) -> bool {
        self.exp + exp_to_add <= i64::MAX
    }

    fn AddExp(&mut self, exp_to_add: u32) -> (r: bool)
        ensures
            final(self).exp == old(self).exp + exp_to_add,
            final(self).level == settled_level(old(self).level as int, final(self).exp as int),
            r == (final(self).level > old(self).level),
            final(self).level >= old(self).level,
            final(self).exp >= old(self).exp,
            final(self).nickname == old(self).nickname,
            final(self).avatar == old(self).avatar,
            final(self).created_at == old(self).created_at,
    {
        let old_level = self.level;
        self.exp = self.exp + exp_to_add as i64;
        let mut level_increased = false;
        while self.level < MAX_LEVEL
            invariant
                self.exp == old(self).exp + exp_to_add,
                self.level >= old_level,
                old_level == old(self).level,
                settled_level(self.level as int, self.exp as int) == settled_level(
                    old_level as int,
                    self.exp as int,
                ),
                level_increased == (self.level > old_level),
                self.nickname == old(self).nickname,
                self.avatar == old(self).avatar,
                self.created_at == old(self).created_at,
            ensures
                settled_level(self.level as int, self.exp as int) == self.level,
            decreases MAX_LEVEL - self.level,
        {
            let required = required_at(self.level + 1);
            if self.exp as i128 >= required as i128 {
                self.level = self.level + 1;
                level_increased = true;
            } else {
                assert(settled_level(self.level as int, self.exp as int) == self.level);
                break;
            }
        }
        proof {
            lemma_settled_level_bounds(old_level as int, self.exp as int);
        }
        level_increased
    }

    fn CalculateRequiredExpForLevel(&self, target_level: u32) -> (r: u32)
        ensures
            r == required_exp_u32(target_level as int),
    {
        let exact = required_exp_exact(target_level);
        if exact > u32::MAX as u64 {
            u32::MAX
        } else {
            exact as u32
        }
    }

    fn GetExpToNextLevel(&self) -> (r: u64)
        ensures
            r == exp_to_next(self.level as int, self.exp as int),
    {
        if self.level >= MAX_LEVEL {
            return 0;
        }
        let required = required_at(self.level + 1);
        if self.exp as i128 >= required as i128 {
            0
        } else {
            (required as i128 - self.exp as i128) as u64
        }
    }

    fn GetLevelProgress(&self) -> (r: LevelProgress)
        ensures
            r == progress_of(self.level as int, self.exp as int),
    {
        if self.level >= MAX_LEVEL {
            return LevelProgress::Complete;
        }
        let current = required_at(self.level);
        let next = required_at(self.level + 1);
        proof {
            if self.level >= 1 {
                lemma_required_exp_monotone(self.level as int, self.level + 1);
            }
        }
        let span = next - current;
        if span == 0 {
            LevelProgress::Complete
        } else {
            LevelProgress::Partial { earned: self.exp as i128 - current as i128, span }
        }
    }

    fn IsValid(&self) -> (r: bool)
        ensures
            r == (1 <= self.nickname@.len() <= 50 && 1 <= self.level <= MAX_LEVEL && 1
                <= self.avatar@.len() <= 100),
    {
        let nickname_len = self.nickname.as_str().unicode_len();
        let avatar_len = self.avatar.as_str().unicode_len();
        1 <= nickname_len && nickname_len <= 50 && 1 <= self.level && self.level <= MAX_LEVEL && 1
            <= avatar_len && avatar_len <= 100
    }
}

/// Currency and capacity rules of an inventory.
pub trait InventoryEntityExt: Sized {
    /// Adds gold unless the balance would pass `MAX_CURRENCY`.
    fn AddGold(&mut self, amount: u32) -> bool;

    /// Takes gold unless the balance would go negative.
    fn RemoveGold(&mut self, amount: u32) -> bool;

    /// Adds gems unless the balance would pass `MAX_CURRENCY`.
    fn AddGems(&mut self, amount: u32) -> bool;

    /// Takes gems unless the balance would go negative.
    fn RemoveGems(&mut self, amount: u32) -> bool;

    /// Number of item stacks held.
    fn GetItemCount(&self) -> usize;

    /// Whether one more item stack fits.
    fn HasSpace(&self) -> bool;

    /// Capacity, item count and balances are in range.
    fn IsValid(&self) -> bool;
}

impl InventoryEntityExt for InventoryEntity {
    fn AddGold(&mut self, amount: u32) -> (r: bool)
        ensures
            r == (old(self).gold + amount <= MAX_CURRENCY),
            final(self).gold == credited(old(self).gold as int, amount as int),
            r ==> final(self).gold <= MAX_CURRENCY,
            old(self).gold <= MAX_CURRENCY ==> final(self).gold <= MAX_CURRENCY,
            !r ==> final(self).gold == old(self).gold,
            final(self).gems == old(self).gems,
            final(self).capacity == old(self).capacity,
            final(self).items@ == old(self).items@,
    {
        if self.gold as i128 + amount as i128 > MAX_CURRENCY as i128 {
            return false;
        }
        self.gold = self.gold + amount as i64;
        true
    }

    fn RemoveGold(&mut self, amount: u32) -> (r: bool)
        ensures
            r == (amount <= old(self).gold),
            final(self).gold == debited(old(self).gold as int, amount as int),
            r ==> final(self).gold >= 0,
            old(self).gold >= 0 ==> final(self).gold >= 0,
            !r ==> final(self).gold == old(self).gold,
            final(self).gems == old(self).gems,
            final(self).capacity == old(self).capacity,
            final(self).items@ == old(self).items@,
    {
        if self.gold < amount as i64 {
            return false;
        }
        self.gold = self.gold - amount as i64;
        true
    }

    fn AddGems(&mut self, amount: u32) -> (r: bool)
        ensures
            r == (old(self).gems + amount <= MAX_CURRENCY),
            final(self).gems == credited(old(self).gems as int, amount as int),
            r ==> final(self).gems <= MAX_CURRENCY,
            old(self).gems <= MAX_CURRENCY ==> final(self).gems <= MAX_CURRENCY,
            !r ==> final(self).gems == old(self).gems,
            final(self).gold == old(self).gold,
            final(self).capacity == old(self).capacity,
            final(self).items@ == old(self).items@,
    {
        if self.gems as i128 + amount as i128 > MAX_CURRENCY as i128 {
            return false;
        }
        self.gems = self.gems + amount as i64;
        true
    }

    fn RemoveGems(&mut self, amount: u32) -> (r: bool)
        ensures
            r == (amount <= old(self).gems),
            final(self).gems == debited(old(self).gems as int, amount as int),
            r ==> final(self).gems >= 0,
            old(self).gems >= 0 ==> final(self).gems >= 0,
            !r ==> final(self).gems == old(self).gems,
            final(self).gold == old(self).gold,
            final(self).capacity == old(self).capacity,
            final(self).items@ == old(self).items@,
    {
        if self.gems < amount as i64 {
            return false;
        }
        self.gems = self.gems - amount as i64;
        true
    }

    fn GetItemCount(&self) -> (r: usize)
        ensures
            r == self.items@.len(),
    {
        self.items.len()
    }

    fn HasSpace(&self) -> (r: bool)
        ensures
            r == (self.items@.len() < self.capacity),
    {
        (self.items.len() as i128) < (self.capacity as i128)
    }

    fn IsValid(&self) -> (r: bool)
        ensures
            r == (1 <= self.capacity <= 1000 && self.items@.len() <= self.capacity && self.gold
                <= MAX_CURRENCY && self.gems <= MAX_CURRENCY),
    {
        1 <= self.capacity && self.capacity <= 1000 && (self.items.len() as i128) <= (
        self.capacity as i128) && self.gold <= MAX_CURRENCY && self.gems <= MAX_CURRENCY
    }
}

/// Rules that span a user's profile and inventory.
pub trait UserAggregatesExt: Sized {
    /// The profile's level is in range and `exp_to_add` keeps its experience
    /// within its integer type.
    spec fn reward_ready(&self, exp_to_add: u32) -> bool;

    /// Adds experience and pays the level-up rewards; true when the level rose.
    fn AddExpWithRewards(&mut self, exp_to_add: u32) -> bool
        requires
            old(self).reward_ready(exp_to_add),
    ;

    /// Profile and inventory are each valid.
    fn IsValid(&self) -> bool;
}

impl UserAggregatesExt for UserAggregates {
    open spec fn reward_ready(&self, exp_to_add: u32) -> bool {
        &&& 1 <= self.profile.level <= MAX_LEVEL
        &&& self.profile.exp + exp_to_add <= i64::MAX
    }

    fn AddExpWithRewards(&mut self, exp_to_add: u32) -> (r: bool)
        ensures
            final(self).profile.exp == old(self).profile.exp + exp_to_add,
            final(self).profile.level == settled_level(
                old(self).profile.level as int,
                final(self).profile.exp as int,
            ),
            r == (final(self).profile.level > old(self).profile.level),
            final(self).profile.nickname == old(self).profile.nickname,
            final(self).profile.avatar == old(self).profile.avatar,
            final(self).profile.created_at == old(self).profile.created_at,
            final(self).inventory.gold == if r {
                credited(
                    old(self).inventory.gold as int,
                    gold_reward(old(self).profile.level as int, final(self).profile.level as int),
                )
            } else {
                old(self).inventory.gold as int
            },
            final(self).inventory.gems == if r && final(self).profile.level % 5 == 0 {
                credited(old(self).inventory.gems as int, final(self).profile.level / 5)
            } else {
                old(self).inventory.gems as int
            },
            final(self).inventory.capacity == old(self).inventory.capacity,
            final(self).inventory.items@ == old(self).inventory.items@,
    {
        let old_level = self.profile.level;
        let level_increased = self.profile.AddExp(exp_to_add);
        if level_increased {
            let new_level = self.profile.level;
            proof {
                lemma_settled_level_bounds(old_level as int, self.profile.exp as int);
            }
            assert(old_level <= new_level <= MAX_LEVEL);
            let landed = new_level as u32;
            let levels_gained = landed - old_level as u32;
            assert(100 * levels_gained * landed <= 100 * 100 * 100) by (nonlinear_arith)
                requires
                    levels_gained <= 100,
                    landed <= 100,
            ;
            let gold_reward = 100 * levels_gained * landed;
            self.inventory.AddGold(gold_reward);
            if new_level % 5 == 0 {
                let gem_reward = landed / 5;
                self.inventory.AddGems(gem_reward);
            }
        }
        level_increased
    }

    fn IsValid(&self) -> (r: bool)
        ensures
            r == (1 <= self.profile.nickname@.len() <= 50 && 1 <= self.profile.level <= MAX_LEVEL
                && 1 <= self.profile.avatar@.len() <= 100 && 1 <= self.inventory.capacity <= 1000
                && self.inventory.items@.len() <= self.inventory.capacity
                && self.inventory.gold <= MAX_CURRENCY && self.inventory.gems <= MAX_CURRENCY),
    {
        self.profile.IsValid() && self.inventory.IsValid()
    }
}

} // verus!

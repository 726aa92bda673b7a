//! Properties that hold across the progression rules.
use vstd::prelude::*;

use crate::curve::{lemma_required_exp_monotone, lemma_required_exp_small, required_exp};
use crate::types::{
    is_earned_level, progress_of, settled_level, LevelProgress, ProfileEntity, MAX_LEVEL,
};

verus! {

/// Climbing from a level that `exp` covers ends on the level that `exp` earns.
proof fn lemma_settled_is_earned(level: int, exp: int)
    requires
        1 <= level <= MAX_LEVEL,
        required_exp(level) <= exp,
    ensures
        is_earned_level(settled_level(level, exp), exp),
    decreases MAX_LEVEL - level,
{
    if level < MAX_LEVEL && exp >= required_exp(level + 1) {
        lemma_settled_is_earned(level + 1, exp);
    }
}

/// At most one level is earned by a given amount of experience.
pub proof fn lemma_earned_level_unique(a: int, b: int, exp: int)
    requires
        is_earned_level(a, exp),
        is_earned_level(b, exp),
    ensures
        a == b,
{
    if a < b {
        lemma_required_exp_monotone(a + 1, b);
    } else if b < a {
        lemma_required_exp_monotone(b + 1, a);
    }
}

/// Adding experience to a profile whose experience covers its level leaves it on
/// the one level in `[1, MAX_LEVEL]` whose threshold the new total covers and
/// whose successor's it does not (or the last level).
pub proof fn lemma_add_exp_lands_on_earned_level(profile: ProfileEntity, exp_to_add: u32)
    requires
        1 <= profile.level <= MAX_LEVEL,
        required_exp(profile.level as int) <= profile.exp,
    ensures
        is_earned_level(
            settled_level(profile.level as int, profile.exp + exp_to_add),
            profile.exp + exp_to_add,
        ),
        forall|l: int|
            #[trigger] is_earned_level(l, profile.exp + exp_to_add) ==> l == settled_level(
                profile.level as int,
                profile.exp + exp_to_add,
            ),
{
    let total = profile.exp + exp_to_add;
    let landed = settled_level(profile.level as int, total);
    lemma_settled_is_earned(profile.level as int, total);
    assert forall|l: int| is_earned_level(l, total) implies l == landed by {
        lemma_earned_level_unique(l, landed, total);
    }
}

/// On the level that its experience earns, a profile's progress lies within the
/// level: it is complete exactly at the last level, and otherwise covers
/// `earned` of `span` points with `0 <= earned < span`.
pub proof fn lemma_progress_in_range(profile: ProfileEntity)
    requires
        is_earned_level(profile.level as int, profile.exp as int),
    ensures
        (progress_of(profile.level as int, profile.exp as int) == LevelProgress::Complete)
            <==> profile.level == MAX_LEVEL,
        match progress_of(profile.level as int, profile.exp as int) {
            LevelProgress::Complete => true,
            LevelProgress::Partial { earned, span } => 0 <= earned < span,
        },
{
    if profile.level < MAX_LEVEL {
        lemma_required_exp_monotone(profile.level as int, profile.level + 1);
        lemma_required_exp_small(profile.level + 1);
    }
}

} // verus!

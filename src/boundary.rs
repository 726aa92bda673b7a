//! What the host servers call: plain values in, plain values out.
use vstd::prelude::*;
use vstd::string::StringExecFns;

use crate::curve::required_exp_exact;
use crate::types::{
    exp_to_next, progress_of, required_exp_u32, settled_level, LevelProgress, ProfileEntity,
    ProfileEntityExt,
};

verus! {

/// Text that a byte sequence holds as UTF-8, or `None` where it is not UTF-8.
pub uninterp spec fn utf8_decode(b: Seq<u8>) -> Option<Seq<char>>;

/// Relies on `std::str::from_utf8`: it accepts exactly the well-formed UTF-8
/// byte sequences and yields the text they encode.
#[verifier::external_body]
fn decode_utf8(bytes: &[u8]) -> (r: Option<String>)
    ensures
        match r {
            Some(s) => utf8_decode(bytes@) == Some(s@),
            None => utf8_decode(bytes@).is_none(),
        },
{
    std::str::from_utf8(bytes).ok().map(|s| s.to_string())
}

/// Why a boundary call produced no result.
#[derive(Clone, Debug)]
pub enum BoundaryError {
    /// The input bytes are not UTF-8.
    InvalidUtf8,
    /// The input text is no profile; the parser's explanation is attached.
    MalformedProfile(String),
    /// The experience total would not fit its integer type.
    ExpOverflow,
}

impl BoundaryError {
    /// Human-readable message for the error payload.
    pub fn message(&self) -> (r: String)
        ensures
            r@ == match self {
                BoundaryError::InvalidUtf8 => "Invalid UTF-8 in profile JSON"@,
                BoundaryError::MalformedProfile(detail) => "Failed to parse profile JSON: "@
                    + detail@,
                BoundaryError::ExpOverflow => "Experience total out of range"@,
            },
    {
        match self {
            BoundaryError::InvalidUtf8 => String::from_str("Invalid UTF-8 in profile JSON"),
            BoundaryError::MalformedProfile(detail) => String::from_str(
                "Failed to parse profile JSON: ",
            ).concat(detail.as_str()),
            BoundaryError::ExpOverflow => String::from_str("Experience total out of range"),
        }
    }
}

/// The text of a serialized profile, checked to be UTF-8.
pub fn profile_text(bytes: &[u8]) -> (r: Result<String, BoundaryError>)
    ensures
        match r {
            Ok(s) => utf8_decode(bytes@) == Some(s@),
            Err(e) => utf8_decode(bytes@).is_none() && e is InvalidUtf8,
        },
{
    match decode_utf8(bytes) {
        Some(s) => Ok(s),
        None => Err(BoundaryError::InvalidUtf8),
    }
}

/// Outcome of adding experience to a profile.
#[derive(Clone, Debug)]
pub struct ExpReport {
    pub profile: ProfileEntity,
    pub level_increased: bool,
    pub exp_to_next_level: u64,
    pub progress: LevelProgress,
}

/// Adds `exp_to_add` to `profile` and reports the new state, or fails where the
/// experience total would not fit its integer type.
pub fn add_exp_report(profile: ProfileEntity, exp_to_add: u32) -> (r: Result<
    ExpReport,
    BoundaryError,
>)
    ensures
        profile.exp + exp_to_add > i64::MAX <==> (r matches Err(BoundaryError::ExpOverflow)),
        profile.exp + exp_to_add <= i64::MAX ==> (r matches Ok(rep) && {
            let exp = profile.exp + exp_to_add;
            let level = settled_level(profile.level as int, exp);
            &&& rep.profile.exp == exp
            &&& rep.profile.level == level
            &&& rep.profile.nickname@ == profile.nickname@
            &&& rep.profile.avatar@ == profile.avatar@
            &&& rep.profile.created_at@ == profile.created_at@
            &&& rep.level_increased == (level > profile.level)
            &&& rep.exp_to_next_level == exp_to_next(level, exp)
            &&& rep.progress == progress_of(level, exp)
        }),
{
    if profile.exp as i128 + exp_to_add as i128 > i64::MAX as i128 {
        return Err(BoundaryError::ExpOverflow);
    }
    let mut profile = profile;
    let level_increased = profile.AddExp(exp_to_add);
    let exp_to_next_level = profile.GetExpToNextLevel();
    let progress = profile.GetLevelProgress();
    Ok(ExpReport { profile, level_increased, exp_to_next_level, progress })
}

/// Cumulative experience that `target_level` asks for, saturated to `u32`.
pub fn calculate_required_exp(target_level: u32) -> (r: u32)
    ensures
        r == required_exp_u32(target_level as int),
{
    let exact = required_exp_exact(target_level);
    if exact > u32::MAX as u64 {
        u32::MAX
    } else {
        exact as u32
    }
}

} // verus!
